//! Session history packet.

use vstd::prelude::*;

use crate::bytes::{
    enc_each, le16, le32, le8, lemma_concat_split, lemma_enc_each_injective, lemma_enc_each_len,
    lemma_enc_each_push, lemma_le16_injective, lemma_le32_injective, lemma_le8_injective,
    lemma_subrange_adjacent, read_u16, read_u32, read_u8, write_u16, write_u32, write_u8,
};
use super::header::{
    decode_header_at, enc_header, encode_header_into, lemma_enc_header_injective, PacketHeader,
};
use super::{packet_id_code, PacketError, PacketID};

verus! {

/// Wire width in bytes.
pub const LAP_HISTORY_LEN: usize = 14;

/// One lap in the session history.
#[derive(Debug, Clone, Copy, PartialEq, Eq)]
pub struct LapHistoryData {
    /// Lap time in milliseconds.
    pub lap_time_in_ms: u32,
    /// Sector 1 time in milliseconds.
    pub sector_1_time_in_ms: u16,
    /// Sector 1 whole minute part.
    pub sector_1_time_minutes: u8,
    /// Sector 2 time in milliseconds.
    pub sector_2_time_in_ms: u16,
    /// Sector 2 whole minute part.
    pub sector_2_time_minutes: u8,
    /// Sector 3 time in milliseconds.
    pub sector_3_time_in_ms: u16,
    /// Sector 3 whole minute part.
    pub sector_3_time_minutes: u8,
    /// Validity bits: lap, sector 1, sector 2, sector 3.
    pub lap_valid_bit_flags: u8,
}

/// Wire encoding.
pub open spec fn enc_lap_history(v: LapHistoryData) -> Seq<u8> {
    le32(v.lap_time_in_ms) + (le16(v.sector_1_time_in_ms) + (le8(v.sector_1_time_minutes) + (le16(v.sector_2_time_in_ms) + (le8(v.sector_2_time_minutes) + (le16(v.sector_3_time_in_ms) + (le8(v.sector_3_time_minutes) + (le8(v.lap_valid_bit_flags))))))))
}

/// The element encoding, as a function value.
pub open spec fn enc_lap_history_fn() -> spec_fn(LapHistoryData) -> Seq<u8> {
    |v: LapHistoryData| enc_lap_history(v)
}

/// The encoding is 14 bytes long.
pub proof fn lemma_enc_lap_history_len(v: LapHistoryData)
    ensures
        enc_lap_history(v).len() == LAP_HISTORY_LEN,
{
}

/// An encoding determines the value: the round-trip guarantee.
pub proof fn lemma_enc_lap_history_injective(a: LapHistoryData, b: LapHistoryData)
    requires
        enc_lap_history(a) == enc_lap_history(b),
    ensures
        a == b,
{
    let ta7 = le8(a.lap_valid_bit_flags);
    let tb7 = le8(b.lap_valid_bit_flags);
    let ta6 = le8(a.sector_3_time_minutes) + ta7;
    let tb6 = le8(b.sector_3_time_minutes) + tb7;
    let ta5 = le16(a.sector_3_time_in_ms) + ta6;
    let tb5 = le16(b.sector_3_time_in_ms) + tb6;
    let ta4 = le8(a.sector_2_time_minutes) + ta5;
    let tb4 = le8(b.sector_2_time_minutes) + tb5;
    let ta3 = le16(a.sector_2_time_in_ms) + ta4;
    let tb3 = le16(b.sector_2_time_in_ms) + tb4;
    let ta2 = le8(a.sector_1_time_minutes) + ta3;
    let tb2 = le8(b.sector_1_time_minutes) + tb3;
    let ta1 = le16(a.sector_1_time_in_ms) + ta2;
    let tb1 = le16(b.sector_1_time_in_ms) + tb2;
    assert(le32(a.lap_time_in_ms) + ta1 == enc_lap_history(a));
    assert(le32(b.lap_time_in_ms) + tb1 == enc_lap_history(b));
    lemma_concat_split(le32(a.lap_time_in_ms), ta1, le32(b.lap_time_in_ms), tb1);
    lemma_le32_injective(a.lap_time_in_ms, b.lap_time_in_ms);
    lemma_concat_split(le16(a.sector_1_time_in_ms), ta2, le16(b.sector_1_time_in_ms), tb2);
    lemma_le16_injective(a.sector_1_time_in_ms, b.sector_1_time_in_ms);
    lemma_concat_split(le8(a.sector_1_time_minutes), ta3, le8(b.sector_1_time_minutes), tb3);
    lemma_le8_injective(a.sector_1_time_minutes, b.sector_1_time_minutes);
    lemma_concat_split(le16(a.sector_2_time_in_ms), ta4, le16(b.sector_2_time_in_ms), tb4);
    lemma_le16_injective(a.sector_2_time_in_ms, b.sector_2_time_in_ms);
    lemma_concat_split(le8(a.sector_2_time_minutes), ta5, le8(b.sector_2_time_minutes), tb5);
    lemma_le8_injective(a.sector_2_time_minutes, b.sector_2_time_minutes);
    lemma_concat_split(le16(a.sector_3_time_in_ms), ta6, le16(b.sector_3_time_in_ms), tb6);
    lemma_le16_injective(a.sector_3_time_in_ms, b.sector_3_time_in_ms);
    lemma_concat_split(le8(a.sector_3_time_minutes), ta7, le8(b.sector_3_time_minutes), tb7);
    lemma_le8_injective(a.sector_3_time_minutes, b.sector_3_time_minutes);
    lemma_le8_injective(a.lap_valid_bit_flags, b.lap_valid_bit_flags);
}

impl LapHistoryData {
    /// A record with every field zero.
    pub fn zeroed() -> (r: LapHistoryData)
        ensures
            r == (LapHistoryData {
                    lap_time_in_ms: 0,
                    sector_1_time_in_ms: 0,
                    sector_1_time_minutes: 0,
                    sector_2_time_in_ms: 0,
                    sector_2_time_minutes: 0,
                    sector_3_time_in_ms: 0,
                    sector_3_time_minutes: 0,
                    lap_valid_bit_flags: 0,
            }),
    {
        LapHistoryData {
            lap_time_in_ms: 0,
            sector_1_time_in_ms: 0,
            sector_1_time_minutes: 0,
            sector_2_time_in_ms: 0,
            sector_2_time_minutes: 0,
            sector_3_time_in_ms: 0,
            sector_3_time_minutes: 0,
            lap_valid_bit_flags: 0,
        }
    }
}

/// Decodes one record at the cursor.
fn decode_lap_history_at(buf: &[u8], pos: &mut usize) -> (r: LapHistoryData)
    requires
        *old(pos) + LAP_HISTORY_LEN <= buf@.len(),
    ensures
        *final(pos) == *old(pos) + LAP_HISTORY_LEN,
        enc_lap_history(r) == buf@.subrange(*old(pos) as int, *final(pos) as int),
{
    let ghost start = *pos;
    let lap_time_in_ms = read_u32(buf, pos);
    let sector_1_time_in_ms = read_u16(buf, pos);
    let sector_1_time_minutes = read_u8(buf, pos);
    let sector_2_time_in_ms = read_u16(buf, pos);
    let sector_2_time_minutes = read_u8(buf, pos);
    let sector_3_time_in_ms = read_u16(buf, pos);
    let sector_3_time_minutes = read_u8(buf, pos);
    let lap_valid_bit_flags = read_u8(buf, pos);
    let r = LapHistoryData {
        lap_time_in_ms,
        sector_1_time_in_ms,
        sector_1_time_minutes,
        sector_2_time_in_ms,
        sector_2_time_minutes,
        sector_3_time_in_ms,
        sector_3_time_minutes,
        lap_valid_bit_flags,
    };
    proof {
        assert(enc_lap_history(r) =~= buf@.subrange(start as int, start as int + LAP_HISTORY_LEN as int));
    }
    r
}

/// Appends the wire encoding.
fn encode_lap_history_into(v: &LapHistoryData, out: &mut Vec<u8>)
    ensures
        final(out)@ == old(out)@ + enc_lap_history(*v),
{
    write_u32(out, v.lap_time_in_ms);
    write_u16(out, v.sector_1_time_in_ms);
    write_u8(out, v.sector_1_time_minutes);
    write_u16(out, v.sector_2_time_in_ms);
    write_u8(out, v.sector_2_time_minutes);
    write_u16(out, v.sector_3_time_in_ms);
    write_u8(out, v.sector_3_time_minutes);
    write_u8(out, v.lap_valid_bit_flags);
    proof {
        assert(out@ =~= old(out)@ + enc_lap_history(*v));
    }
}

/// Wire width in bytes.
pub const TYRE_STINT_LEN: usize = 3;

/// One tyre stint in the session history.
#[derive(Debug, Clone, Copy, PartialEq, Eq)]
pub struct TyreStintHistoryData {
    /// Lap the stint ends on; 255 for the current stint.
    pub end_lap: u8,
    /// Actual tyre compound used.
    pub tyre_actual_compound: u8,
    /// Visual tyre compound used.
    pub tyre_visual_compound: u8,
}

/// Wire encoding.
pub open spec fn enc_tyre_stint(v: TyreStintHistoryData) -> Seq<u8> {
    le8(v.end_lap) + (le8(v.tyre_actual_compound) + (le8(v.tyre_visual_compound)))
}

/// The element encoding, as a function value.
pub open spec fn enc_tyre_stint_fn() -> spec_fn(TyreStintHistoryData) -> Seq<u8> {
    |v: TyreStintHistoryData| enc_tyre_stint(v)
}

/// The encoding is 3 bytes long.
pub proof fn lemma_enc_tyre_stint_len(v: TyreStintHistoryData)
    ensures
        enc_tyre_stint(v).len() == TYRE_STINT_LEN,
{
}

/// An encoding determines the value: the round-trip guarantee.
pub proof fn lemma_enc_tyre_stint_injective(a: TyreStintHistoryData, b: TyreStintHistoryData)
    requires
        enc_tyre_stint(a) == enc_tyre_stint(b),
    ensures
        a == b,
{
    let ta2 = le8(a.tyre_visual_compound);
    let tb2 = le8(b.tyre_visual_compound);
    let ta1 = le8(a.tyre_actual_compound) + ta2;
    let tb1 = le8(b.tyre_actual_compound) + tb2;
    assert(le8(a.end_lap) + ta1 == enc_tyre_stint(a));
    assert(le8(b.end_lap) + tb1 == enc_tyre_stint(b));
    lemma_concat_split(le8(a.end_lap), ta1, le8(b.end_lap), tb1);
    lemma_le8_injective(a.end_lap, b.end_lap);
    lemma_concat_split(le8(a.tyre_actual_compound), ta2, le8(b.tyre_actual_compound), tb2);
    lemma_le8_injective(a.tyre_actual_compound, b.tyre_actual_compound);
    lemma_le8_injective(a.tyre_visual_compound, b.tyre_visual_compound);
}

impl TyreStintHistoryData {
    /// A record with every field zero.
    pub fn zeroed() -> (r: TyreStintHistoryData)
        ensures
            r == (TyreStintHistoryData {
                    end_lap: 0,
                    tyre_actual_compound: 0,
                    tyre_visual_compound: 0,
            }),
    {
        TyreStintHistoryData {
            end_lap: 0,
            tyre_actual_compound: 0,
            tyre_visual_compound: 0,
        }
    }
}

/// Decodes one record at the cursor.
fn decode_tyre_stint_at(buf: &[u8], pos: &mut usize) -> (r: TyreStintHistoryData)
    requires
        *old(pos) + TYRE_STINT_LEN <= buf@.len(),
    ensures
        *final(pos) == *old(pos) + TYRE_STINT_LEN,
        enc_tyre_stint(r) == buf@.subrange(*old(pos) as int, *final(pos) as int),
{
    let ghost start = *pos;
    let end_lap = read_u8(buf, pos);
    let tyre_actual_compound = read_u8(buf, pos);
    let tyre_visual_compound = read_u8(buf, pos);
    let r = TyreStintHistoryData {
        end_lap,
        tyre_actual_compound,
        tyre_visual_compound,
    };
    proof {
        assert(enc_tyre_stint(r) =~= buf@.subrange(start as int, start as int + TYRE_STINT_LEN as int));
    }
    r
}

/// Appends the wire encoding.
fn encode_tyre_stint_into(v: &TyreStintHistoryData, out: &mut Vec<u8>)
    ensures
        final(out)@ == old(out)@ + enc_tyre_stint(*v),
{
    write_u8(out, v.end_lap);
    write_u8(out, v.tyre_actual_compound);
    write_u8(out, v.tyre_visual_compound);
    proof {
        assert(out@ =~= old(out)@ + enc_tyre_stint(*v));
    }
}

/// Wire width in bytes.
pub const PACKET_SESSION_HISTORY_LEN: usize = 1460;

/// Session history packet: lap times and tyre usage of one car.
#[derive(Debug, Clone, Copy, PartialEq, Eq)]
pub struct PacketSessionHistoryData {
    /// Packet header.
    pub header: PacketHeader,
    /// Index of the car this data relates to.
    pub car_idx: u8,
    /// Number of laps in the data.
    pub num_laps: u8,
    /// Number of tyre stints in the data.
    pub num_tyre_stints: u8,
    /// Lap with the best lap time.
    pub best_lap_time_lap_num: u8,
    /// Lap with the best sector 1 time.
    pub best_sector_1_lap_num: u8,
    /// Lap with the best sector 2 time.
    pub best_sector_2_lap_num: u8,
    /// Lap with the best sector 3 time.
    pub best_sector_3_lap_num: u8,
    /// Lap history, up to 100 laps.
    pub lap_history_data: [LapHistoryData; 100],
    /// Tyre stint history.
    pub tyre_stints_history_data: [TyreStintHistoryData; 8],
}

/// Wire encoding.
pub open spec fn enc_packet_session_history(v: PacketSessionHistoryData) -> Seq<u8> {
    enc_header(v.header) + (le8(v.car_idx) + (le8(v.num_laps) + (le8(v.num_tyre_stints) + (le8(v.best_lap_time_lap_num) + (le8(v.best_sector_1_lap_num) + (le8(v.best_sector_2_lap_num) + (le8(v.best_sector_3_lap_num) + (enc_each(v.lap_history_data@, enc_lap_history_fn()) + (enc_each(v.tyre_stints_history_data@, enc_tyre_stint_fn()))))))))))
}

/// The encoding is 1460 bytes long.
pub proof fn lemma_enc_packet_session_history_len(v: PacketSessionHistoryData)
    ensures
        enc_packet_session_history(v).len() == PACKET_SESSION_HISTORY_LEN,
{
    assert forall|x: LapHistoryData| (#[trigger] enc_lap_history_fn()(x)).len() == LAP_HISTORY_LEN by {
        lemma_enc_lap_history_len(x);
    }
    lemma_enc_each_len(v.lap_history_data@, enc_lap_history_fn(), LAP_HISTORY_LEN as nat);
    assert forall|x: TyreStintHistoryData| (#[trigger] enc_tyre_stint_fn()(x)).len() == TYRE_STINT_LEN by {
        lemma_enc_tyre_stint_len(x);
    }
    lemma_enc_each_len(v.tyre_stints_history_data@, enc_tyre_stint_fn(), TYRE_STINT_LEN as nat);
}

/// An encoding determines the value: the round-trip guarantee.
pub proof fn lemma_enc_packet_session_history_injective(a: PacketSessionHistoryData, b: PacketSessionHistoryData)
    requires
        enc_packet_session_history(a) == enc_packet_session_history(b),
    ensures
        a == b,
{
    assert forall|x: LapHistoryData| (#[trigger] enc_lap_history_fn()(x)).len() == LAP_HISTORY_LEN by {
        lemma_enc_lap_history_len(x);
    }
    lemma_enc_each_len(a.lap_history_data@, enc_lap_history_fn(), LAP_HISTORY_LEN as nat);
    lemma_enc_each_len(b.lap_history_data@, enc_lap_history_fn(), LAP_HISTORY_LEN as nat);
    assert forall|x: TyreStintHistoryData| (#[trigger] enc_tyre_stint_fn()(x)).len() == TYRE_STINT_LEN by {
        lemma_enc_tyre_stint_len(x);
    }
    lemma_enc_each_len(a.tyre_stints_history_data@, enc_tyre_stint_fn(), TYRE_STINT_LEN as nat);
    lemma_enc_each_len(b.tyre_stints_history_data@, enc_tyre_stint_fn(), TYRE_STINT_LEN as nat);
    let ta9 = enc_each(a.tyre_stints_history_data@, enc_tyre_stint_fn());
    let tb9 = enc_each(b.tyre_stints_history_data@, enc_tyre_stint_fn());
    let ta8 = enc_each(a.lap_history_data@, enc_lap_history_fn()) + ta9;
    let tb8 = enc_each(b.lap_history_data@, enc_lap_history_fn()) + tb9;
    let ta7 = le8(a.best_sector_3_lap_num) + ta8;
    let tb7 = le8(b.best_sector_3_lap_num) + tb8;
    let ta6 = le8(a.best_sector_2_lap_num) + ta7;
    let tb6 = le8(b.best_sector_2_lap_num) + tb7;
    let ta5 = le8(a.best_sector_1_lap_num) + ta6;
    let tb5 = le8(b.best_sector_1_lap_num) + tb6;
    let ta4 = le8(a.best_lap_time_lap_num) + ta5;
    let tb4 = le8(b.best_lap_time_lap_num) + tb5;
    let ta3 = le8(a.num_tyre_stints) + ta4;
    let tb3 = le8(b.num_tyre_stints) + tb4;
    let ta2 = le8(a.num_laps) + ta3;
    let tb2 = le8(b.num_laps) + tb3;
    let ta1 = le8(a.car_idx) + ta2;
    let tb1 = le8(b.car_idx) + tb2;
    assert(enc_header(a.header) + ta1 == enc_packet_session_history(a));
    assert(enc_header(b.header) + tb1 == enc_packet_session_history(b));
    lemma_concat_split(enc_header(a.header), ta1, enc_header(b.header), tb1);
    lemma_enc_header_injective(a.header, b.header);
    lemma_concat_split(le8(a.car_idx), ta2, le8(b.car_idx), tb2);
    lemma_le8_injective(a.car_idx, b.car_idx);
    lemma_concat_split(le8(a.num_laps), ta3, le8(b.num_laps), tb3);
    lemma_le8_injective(a.num_laps, b.num_laps);
    lemma_concat_split(le8(a.num_tyre_stints), ta4, le8(b.num_tyre_stints), tb4);
    lemma_le8_injective(a.num_tyre_stints, b.num_tyre_stints);
    lemma_concat_split(le8(a.best_lap_time_lap_num), ta5, le8(b.best_lap_time_lap_num), tb5);
    lemma_le8_injective(a.best_lap_time_lap_num, b.best_lap_time_lap_num);
    lemma_concat_split(le8(a.best_sector_1_lap_num), ta6, le8(b.best_sector_1_lap_num), tb6);
    lemma_le8_injective(a.best_sector_1_lap_num, b.best_sector_1_lap_num);
    lemma_concat_split(le8(a.best_sector_2_lap_num), ta7, le8(b.best_sector_2_lap_num), tb7);
    lemma_le8_injective(a.best_sector_2_lap_num, b.best_sector_2_lap_num);
    lemma_concat_split(le8(a.best_sector_3_lap_num), ta8, le8(b.best_sector_3_lap_num), tb8);
    lemma_le8_injective(a.best_sector_3_lap_num, b.best_sector_3_lap_num);
    lemma_concat_split(enc_each(a.lap_history_data@, enc_lap_history_fn()), ta9, enc_each(b.lap_history_data@, enc_lap_history_fn()), tb9);
    assert forall|x: LapHistoryData, y: LapHistoryData|
        #[trigger] enc_lap_history_fn()(x) == #[trigger] enc_lap_history_fn()(y) implies x == y by {
        lemma_enc_lap_history_injective(x, y);
    }
    lemma_enc_each_injective(a.lap_history_data@, b.lap_history_data@, enc_lap_history_fn(), LAP_HISTORY_LEN as nat);
    assert(a.lap_history_data =~= b.lap_history_data);
    assert forall|x: TyreStintHistoryData, y: TyreStintHistoryData|
        #[trigger] enc_tyre_stint_fn()(x) == #[trigger] enc_tyre_stint_fn()(y) implies x == y by {
        lemma_enc_tyre_stint_injective(x, y);
    }
    lemma_enc_each_injective(a.tyre_stints_history_data@, b.tyre_stints_history_data@, enc_tyre_stint_fn(), TYRE_STINT_LEN as nat);
    assert(a.tyre_stints_history_data =~= b.tyre_stints_history_data);
}

/// Decodes the packet body at the cursor.
fn decode_packet_session_history_at(buf: &[u8], pos: &mut usize) -> (r: PacketSessionHistoryData)
    requires
        *old(pos) + PACKET_SESSION_HISTORY_LEN <= buf@.len(),
    ensures
        *final(pos) == *old(pos) + PACKET_SESSION_HISTORY_LEN,
        enc_packet_session_history(r) == buf@.subrange(*old(pos) as int, *final(pos) as int),
{
    let ghost start = *pos;
    let header = decode_header_at(buf, pos);
    let car_idx = read_u8(buf, pos);
    let num_laps = read_u8(buf, pos);
    let num_tyre_stints = read_u8(buf, pos);
    let best_lap_time_lap_num = read_u8(buf, pos);
    let best_sector_1_lap_num = read_u8(buf, pos);
    let best_sector_2_lap_num = read_u8(buf, pos);
    let best_sector_3_lap_num = read_u8(buf, pos);
    let lap_history_data = decode_lap_history_array(buf, pos);
    let tyre_stints_history_data = decode_tyre_stint_array(buf, pos);
    let r = PacketSessionHistoryData {
        header,
        car_idx,
        num_laps,
        num_tyre_stints,
        best_lap_time_lap_num,
        best_sector_1_lap_num,
        best_sector_2_lap_num,
        best_sector_3_lap_num,
        lap_history_data,
        tyre_stints_history_data,
    };
    proof {
        assert(enc_packet_session_history(r) =~= buf@.subrange(start as int, start as int + PACKET_SESSION_HISTORY_LEN as int));
    }
    r
}

/// Decodes the 100-element array of records at the cursor.
fn decode_lap_history_array(buf: &[u8], pos: &mut usize) -> (r: [LapHistoryData; 100])
    requires
        *old(pos) + 100 * LAP_HISTORY_LEN <= buf@.len(),
    ensures
        *final(pos) == *old(pos) + 100 * LAP_HISTORY_LEN,
        enc_each(r@, enc_lap_history_fn()) == buf@.subrange(*old(pos) as int, *final(pos) as int),
{
    let ghost start = *pos;
    let z = LapHistoryData::zeroed();
    let mut arr = [z; 100];
    proof {
        assert(arr@.take(0) =~= Seq::<LapHistoryData>::empty());
        assert(buf@.subrange(start as int, start as int) =~= Seq::<u8>::empty());
    }
    for i in 0..100
        invariant
            *pos == start + i * LAP_HISTORY_LEN,
            start + 100 * LAP_HISTORY_LEN <= buf@.len(),
            arr@.len() == 100,
            enc_each(arr@.take(i as int), enc_lap_history_fn()) == buf@.subrange(
                start as int,
                *pos as int,
            ),
    {
        let ghost prev = arr@;
        let ghost p0 = *pos;
        let v = decode_lap_history_at(buf, pos);
        arr[i] = v;
        proof {
            assert(arr@.take(i as int) =~= prev.take(i as int));
            assert(arr@.take(i as int + 1) =~= prev.take(i as int).push(v));
            lemma_enc_each_push(prev.take(i as int), enc_lap_history_fn(), v);
            assert(enc_lap_history_fn()(v) == enc_lap_history(v));
            lemma_subrange_adjacent(buf@, start as int, p0 as int, p0 as int + LAP_HISTORY_LEN as int);
        }
    }
    proof {
        assert(arr@.take(100) =~= arr@);
    }
    arr
}

/// Decodes the 8-element array of records at the cursor.
fn decode_tyre_stint_array(buf: &[u8], pos: &mut usize) -> (r: [TyreStintHistoryData; 8])
    requires
        *old(pos) + 8 * TYRE_STINT_LEN <= buf@.len(),
    ensures
        *final(pos) == *old(pos) + 8 * TYRE_STINT_LEN,
        enc_each(r@, enc_tyre_stint_fn()) == buf@.subrange(*old(pos) as int, *final(pos) as int),
{
    let ghost start = *pos;
    let z = TyreStintHistoryData::zeroed();
    let mut arr = [z; 8];
    proof {
        assert(arr@.take(0) =~= Seq::<TyreStintHistoryData>::empty());
        assert(buf@.subrange(start as int, start as int) =~= Seq::<u8>::empty());
    }
    for i in 0..8
        invariant
            *pos == start + i * TYRE_STINT_LEN,
            start + 8 * TYRE_STINT_LEN <= buf@.len(),
            arr@.len() == 8,
            enc_each(arr@.take(i as int), enc_tyre_stint_fn()) == buf@.subrange(
                start as int,
                *pos as int,
            ),
    {
        let ghost prev = arr@;
        let ghost p0 = *pos;
        let v = decode_tyre_stint_at(buf, pos);
        arr[i] = v;
        proof {
            assert(arr@.take(i as int) =~= prev.take(i as int));
            assert(arr@.take(i as int + 1) =~= prev.take(i as int).push(v));
            lemma_enc_each_push(prev.take(i as int), enc_tyre_stint_fn(), v);
            assert(enc_tyre_stint_fn()(v) == enc_tyre_stint(v));
            lemma_subrange_adjacent(buf@, start as int, p0 as int, p0 as int + TYRE_STINT_LEN as int);
        }
    }
    proof {
        assert(arr@.take(8) =~= arr@);
    }
    arr
}

/// Appends the wire encoding.
fn encode_packet_session_history_into(v: &PacketSessionHistoryData, out: &mut Vec<u8>)
    ensures
        final(out)@ == old(out)@ + enc_packet_session_history(*v),
{
    encode_header_into(&v.header, out);
    write_u8(out, v.car_idx);
    write_u8(out, v.num_laps);
    write_u8(out, v.num_tyre_stints);
    write_u8(out, v.best_lap_time_lap_num);
    write_u8(out, v.best_sector_1_lap_num);
    write_u8(out, v.best_sector_2_lap_num);
    write_u8(out, v.best_sector_3_lap_num);
    let ghost beforelap_history_data = out@;
    proof {
        assert(v.lap_history_data@.take(0) =~= Seq::<LapHistoryData>::empty());
        assert(out@ =~= beforelap_history_data + enc_each(v.lap_history_data@.take(0), enc_lap_history_fn()));
    }
    for i in 0..100
        invariant
            v.lap_history_data@.len() == 100,
            out@ == beforelap_history_data + enc_each(v.lap_history_data@.take(i as int), enc_lap_history_fn()),
    {
        encode_lap_history_into(&v.lap_history_data[i], out);
        proof {
            assert(v.lap_history_data@.take(i as int + 1) =~= v.lap_history_data@.take(i as int).push(
                v.lap_history_data@[i as int],
            ));
            lemma_enc_each_push(v.lap_history_data@.take(i as int), enc_lap_history_fn(), v.lap_history_data@[i as int]);
            assert(enc_lap_history_fn()(v.lap_history_data@[i as int]) == enc_lap_history(v.lap_history_data@[i as int]));
            assert(out@ =~= beforelap_history_data + enc_each(v.lap_history_data@.take(i as int + 1), enc_lap_history_fn()));
        }
    }
    proof {
        assert(v.lap_history_data@.take(100) =~= v.lap_history_data@);
    }
    let ghost beforetyre_stints_history_data = out@;
    proof {
        assert(v.tyre_stints_history_data@.take(0) =~= Seq::<TyreStintHistoryData>::empty());
        assert(out@ =~= beforetyre_stints_history_data + enc_each(v.tyre_stints_history_data@.take(0), enc_tyre_stint_fn()));
    }
    for i in 0..8
        invariant
            v.tyre_stints_history_data@.len() == 8,
            out@ == beforetyre_stints_history_data + enc_each(v.tyre_stints_history_data@.take(i as int), enc_tyre_stint_fn()),
    {
        encode_tyre_stint_into(&v.tyre_stints_history_data[i], out);
        proof {
            assert(v.tyre_stints_history_data@.take(i as int + 1) =~= v.tyre_stints_history_data@.take(i as int).push(
                v.tyre_stints_history_data@[i as int],
            ));
            lemma_enc_each_push(v.tyre_stints_history_data@.take(i as int), enc_tyre_stint_fn(), v.tyre_stints_history_data@[i as int]);
            assert(enc_tyre_stint_fn()(v.tyre_stints_history_data@[i as int]) == enc_tyre_stint(v.tyre_stints_history_data@[i as int]));
            assert(out@ =~= beforetyre_stints_history_data + enc_each(v.tyre_stints_history_data@.take(i as int + 1), enc_tyre_stint_fn()));
        }
    }
    proof {
        assert(v.tyre_stints_history_data@.take(8) =~= v.tyre_stints_history_data@);
    }
    proof {
        assert(out@ =~= old(out)@ + enc_packet_session_history(*v));
    }
}

impl PacketSessionHistoryData {
    /// Decodes a packet of this kind from a datagram; fails with the
    /// short-buffer error exactly when fewer than 1460 bytes are given.
    pub fn from_bytes(buf: &[u8]) -> (r: Result<PacketSessionHistoryData, PacketError>)
        ensures
            buf@.len() >= PACKET_SESSION_HISTORY_LEN ==> (r matches Ok(p) && enc_packet_session_history(p)
                == buf@.subrange(0, PACKET_SESSION_HISTORY_LEN as int)),
            buf@.len() < PACKET_SESSION_HISTORY_LEN ==> r == Err::<PacketSessionHistoryData, PacketError>(
                PacketError::ShortBuffer,
            ),
    {
        if buf.len() < PACKET_SESSION_HISTORY_LEN {
            return Err(PacketError::ShortBuffer);
        }
        let mut pos: usize = 0;
        let p = decode_packet_session_history_at(buf, &mut pos);
        Ok(p)
    }

    /// The full wire encoding of this packet.
    pub fn to_bytes(&self) -> (r: Vec<u8>)
        ensures
            r@ == enc_packet_session_history(*self),
    {
        let mut out: Vec<u8> = Vec::new();
        encode_packet_session_history_into(self, &mut out);
        proof {
            assert(Seq::<u8>::empty() + enc_packet_session_history(*self) =~= enc_packet_session_history(*self));
        }
        out
    }

    /// The packet's header.
    pub fn header(&self) -> (r: PacketHeader)
        ensures
            r == self.header,
    {
        self.header
    }

    /// The packet kind named by the header's packet-id byte.
    pub fn packet_id(&self) -> (r: Result<PacketID, PacketError>)
        ensures
            self.header.packet_id <= 13 ==> (r matches Ok(id) && packet_id_code(id)
                == self.header.packet_id),
            self.header.packet_id > 13 ==> r == Err::<PacketID, PacketError>(
                PacketError::InvalidPacketID(self.header.packet_id),
            ),
    {
        self.header.packet_id()
    }
}

} // verus!
