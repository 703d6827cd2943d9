//! Tyre sets packet.

use vstd::prelude::*;

use crate::bytes::{
    enc_each, le16, le8, le_i16, lemma_concat_split, lemma_enc_each_injective, lemma_enc_each_len,
    lemma_enc_each_push, lemma_le8_injective, lemma_le_i16_injective, lemma_subrange_adjacent,
    read_i16, read_u8, write_i16, write_u8,
};
use super::header::{
    decode_header_at, enc_header, encode_header_into, lemma_enc_header_injective, PacketHeader,
};
use super::{packet_id_code, PacketError, PacketID};

verus! {

/// Wire width in bytes.
pub const TYRE_SET_LEN: usize = 10;

/// One tyre set assigned to a vehicle.
#[derive(Debug, Clone, Copy, PartialEq, Eq)]
pub struct TyreSetData {
    /// Actual tyre compound.
    pub actual_tyre_compound: u8,
    /// Visual tyre compound.
    pub visual_tyre_compound: u8,
    /// Tyre wear, percentage.
    pub wear: u8,
    /// Whether this set is currently available.
    pub available: u8,
    /// Recommended session for this set.
    pub recommended_session: u8,
    /// Laps left in this set.
    pub life_span: u8,
    /// Maximum recommended laps for this compound.
    pub usable_life: u8,
    /// Lap delta time against the fitted set in milliseconds.
    pub lap_delta_time: i16,
    /// Whether the set is fitted: 0 no, 1 yes.
    pub fitted: u8,
}

/// Wire encoding.
pub open spec fn enc_tyre_set(v: TyreSetData) -> Seq<u8> {
    le8(v.actual_tyre_compound) + (le8(v.visual_tyre_compound) + (le8(v.wear) + (le8(v.available) + (le8(v.recommended_session) + (le8(v.life_span) + (le8(v.usable_life) + (le_i16(v.lap_delta_time) + (le8(v.fitted)))))))))
}

/// The element encoding, as a function value.
pub open spec fn enc_tyre_set_fn() -> spec_fn(TyreSetData) -> Seq<u8> {
    |v: TyreSetData| enc_tyre_set(v)
}

/// The encoding is 10 bytes long.
pub proof fn lemma_enc_tyre_set_len(v: TyreSetData)
    ensures
        enc_tyre_set(v).len() == TYRE_SET_LEN,
{
}

/// An encoding determines the value: the round-trip guarantee.
pub proof fn lemma_enc_tyre_set_injective(a: TyreSetData, b: TyreSetData)
    requires
        enc_tyre_set(a) == enc_tyre_set(b),
    ensures
        a == b,
{
    let ta8 = le8(a.fitted);
    let tb8 = le8(b.fitted);
    let ta7 = le_i16(a.lap_delta_time) + ta8;
    let tb7 = le_i16(b.lap_delta_time) + tb8;
    let ta6 = le8(a.usable_life) + ta7;
    let tb6 = le8(b.usable_life) + tb7;
    let ta5 = le8(a.life_span) + ta6;
    let tb5 = le8(b.life_span) + tb6;
    let ta4 = le8(a.recommended_session) + ta5;
    let tb4 = le8(b.recommended_session) + tb5;
    let ta3 = le8(a.available) + ta4;
    let tb3 = le8(b.available) + tb4;
    let ta2 = le8(a.wear) + ta3;
    let tb2 = le8(b.wear) + tb3;
    let ta1 = le8(a.visual_tyre_compound) + ta2;
    let tb1 = le8(b.visual_tyre_compound) + tb2;
    assert(le8(a.actual_tyre_compound) + ta1 == enc_tyre_set(a));
    assert(le8(b.actual_tyre_compound) + tb1 == enc_tyre_set(b));
    lemma_concat_split(le8(a.actual_tyre_compound), ta1, le8(b.actual_tyre_compound), tb1);
    lemma_le8_injective(a.actual_tyre_compound, b.actual_tyre_compound);
    lemma_concat_split(le8(a.visual_tyre_compound), ta2, le8(b.visual_tyre_compound), tb2);
    lemma_le8_injective(a.visual_tyre_compound, b.visual_tyre_compound);
    lemma_concat_split(le8(a.wear), ta3, le8(b.wear), tb3);
    lemma_le8_injective(a.wear, b.wear);
    lemma_concat_split(le8(a.available), ta4, le8(b.available), tb4);
    lemma_le8_injective(a.available, b.available);
    lemma_concat_split(le8(a.recommended_session), ta5, le8(b.recommended_session), tb5);
    lemma_le8_injective(a.recommended_session, b.recommended_session);
    lemma_concat_split(le8(a.life_span), ta6, le8(b.life_span), tb6);
    lemma_le8_injective(a.life_span, b.life_span);
    lemma_concat_split(le8(a.usable_life), ta7, le8(b.usable_life), tb7);
    lemma_le8_injective(a.usable_life, b.usable_life);
    lemma_concat_split(le_i16(a.lap_delta_time), ta8, le_i16(b.lap_delta_time), tb8);
    lemma_le_i16_injective(a.lap_delta_time, b.lap_delta_time);
    lemma_le8_injective(a.fitted, b.fitted);
}

impl TyreSetData {
    /// A record with every field zero.
    pub fn zeroed() -> (r: TyreSetData)
        ensures
            r == (TyreSetData {
                    actual_tyre_compound: 0,
                    visual_tyre_compound: 0,
                    wear: 0,
                    available: 0,
                    recommended_session: 0,
                    life_span: 0,
                    usable_life: 0,
                    lap_delta_time: 0,
                    fitted: 0,
            }),
    {
        TyreSetData {
            actual_tyre_compound: 0,
            visual_tyre_compound: 0,
            wear: 0,
            available: 0,
            recommended_session: 0,
            life_span: 0,
            usable_life: 0,
            lap_delta_time: 0,
            fitted: 0,
        }
    }
}

/// Decodes one record at the cursor.
fn decode_tyre_set_at(buf: &[u8], pos: &mut usize) -> (r: TyreSetData)
    requires
        *old(pos) + TYRE_SET_LEN <= buf@.len(),
    ensures
        *final(pos) == *old(pos) + TYRE_SET_LEN,
        enc_tyre_set(r) == buf@.subrange(*old(pos) as int, *final(pos) as int),
{
    let ghost start = *pos;
    let actual_tyre_compound = read_u8(buf, pos);
    let visual_tyre_compound = read_u8(buf, pos);
    let wear = read_u8(buf, pos);
    let available = read_u8(buf, pos);
    let recommended_session = read_u8(buf, pos);
    let life_span = read_u8(buf, pos);
    let usable_life = read_u8(buf, pos);
    let lap_delta_time = read_i16(buf, pos);
    let fitted = read_u8(buf, pos);
    let r = TyreSetData {
        actual_tyre_compound,
        visual_tyre_compound,
        wear,
        available,
        recommended_session,
        life_span,
        usable_life,
        lap_delta_time,
        fitted,
    };
    proof {
        assert(enc_tyre_set(r) =~= buf@.subrange(start as int, start as int + TYRE_SET_LEN as int));
    }
    r
}

/// Appends the wire encoding.
fn encode_tyre_set_into(v: &TyreSetData, out: &mut Vec<u8>)
    ensures
        final(out)@ == old(out)@ + enc_tyre_set(*v),
{
    write_u8(out, v.actual_tyre_compound);
    write_u8(out, v.visual_tyre_compound);
    write_u8(out, v.wear);
    write_u8(out, v.available);
    write_u8(out, v.recommended_session);
    write_u8(out, v.life_span);
    write_u8(out, v.usable_life);
    write_i16(out, v.lap_delta_time);
    write_u8(out, v.fitted);
    proof {
        assert(out@ =~= old(out)@ + enc_tyre_set(*v));
    }
}

/// Wire width in bytes.
pub const PACKET_TYRE_SETS_LEN: usize = 231;

/// Tyre sets packet: the tyre sets assigned to one vehicle.
#[derive(Debug, Clone, Copy, PartialEq, Eq)]
pub struct PacketTyreSetData {
    /// Packet header.
    pub header: PacketHeader,
    /// Index of the car this data relates to.
    pub car_idx: u8,
    /// Thirteen dry and seven wet tyre sets.
    pub tyre_set_data: [TyreSetData; 20],
    /// Index of the fitted set.
    pub fitted_idx: u8,
}

/// Wire encoding.
pub open spec fn enc_packet_tyre_sets(v: PacketTyreSetData) -> Seq<u8> {
    enc_header(v.header) + (le8(v.car_idx) + (enc_each(v.tyre_set_data@, enc_tyre_set_fn()) + (le8(v.fitted_idx))))
}

/// The encoding is 231 bytes long.
pub proof fn lemma_enc_packet_tyre_sets_len(v: PacketTyreSetData)
    ensures
        enc_packet_tyre_sets(v).len() == PACKET_TYRE_SETS_LEN,
{
    assert forall|x: TyreSetData| (#[trigger] enc_tyre_set_fn()(x)).len() == TYRE_SET_LEN by {
        lemma_enc_tyre_set_len(x);
    }
    lemma_enc_each_len(v.tyre_set_data@, enc_tyre_set_fn(), TYRE_SET_LEN as nat);
}

/// An encoding determines the value: the round-trip guarantee.
pub proof fn lemma_enc_packet_tyre_sets_injective(a: PacketTyreSetData, b: PacketTyreSetData)
    requires
        enc_packet_tyre_sets(a) == enc_packet_tyre_sets(b),
    ensures
        a == b,
{
    assert forall|x: TyreSetData| (#[trigger] enc_tyre_set_fn()(x)).len() == TYRE_SET_LEN by {
        lemma_enc_tyre_set_len(x);
    }
    lemma_enc_each_len(a.tyre_set_data@, enc_tyre_set_fn(), TYRE_SET_LEN as nat);
    lemma_enc_each_len(b.tyre_set_data@, enc_tyre_set_fn(), TYRE_SET_LEN as nat);
    let ta3 = le8(a.fitted_idx);
    let tb3 = le8(b.fitted_idx);
    let ta2 = enc_each(a.tyre_set_data@, enc_tyre_set_fn()) + ta3;
    let tb2 = enc_each(b.tyre_set_data@, enc_tyre_set_fn()) + tb3;
    let ta1 = le8(a.car_idx) + ta2;
    let tb1 = le8(b.car_idx) + tb2;
    assert(enc_header(a.header) + ta1 == enc_packet_tyre_sets(a));
    assert(enc_header(b.header) + tb1 == enc_packet_tyre_sets(b));
    lemma_concat_split(enc_header(a.header), ta1, enc_header(b.header), tb1);
    lemma_enc_header_injective(a.header, b.header);
    lemma_concat_split(le8(a.car_idx), ta2, le8(b.car_idx), tb2);
    lemma_le8_injective(a.car_idx, b.car_idx);
    lemma_concat_split(enc_each(a.tyre_set_data@, enc_tyre_set_fn()), ta3, enc_each(b.tyre_set_data@, enc_tyre_set_fn()), tb3);
    assert forall|x: TyreSetData, y: TyreSetData|
        #[trigger] enc_tyre_set_fn()(x) == #[trigger] enc_tyre_set_fn()(y) implies x == y by {
        lemma_enc_tyre_set_injective(x, y);
    }
    lemma_enc_each_injective(a.tyre_set_data@, b.tyre_set_data@, enc_tyre_set_fn(), TYRE_SET_LEN as nat);
    assert(a.tyre_set_data =~= b.tyre_set_data);
    lemma_le8_injective(a.fitted_idx, b.fitted_idx);
}

/// Decodes the packet body at the cursor.
fn decode_packet_tyre_sets_at(buf: &[u8], pos: &mut usize) -> (r: PacketTyreSetData)
    requires
        *old(pos) + PACKET_TYRE_SETS_LEN <= buf@.len(),
    ensures
        *final(pos) == *old(pos) + PACKET_TYRE_SETS_LEN,
        enc_packet_tyre_sets(r) == buf@.subrange(*old(pos) as int, *final(pos) as int),
{
    let ghost start = *pos;
    let header = decode_header_at(buf, pos);
    let car_idx = read_u8(buf, pos);
    let tyre_set_data = decode_tyre_set_array(buf, pos);
    let fitted_idx = read_u8(buf, pos);
    let r = PacketTyreSetData {
        header,
        car_idx,
        tyre_set_data,
        fitted_idx,
    };
    proof {
        assert(enc_packet_tyre_sets(r) =~= buf@.subrange(start as int, start as int + PACKET_TYRE_SETS_LEN as int));
    }
    r
}

/// Decodes the 20-element array of records at the cursor.
fn decode_tyre_set_array(buf: &[u8], pos: &mut usize) -> (r: [TyreSetData; 20])
    requires
        *old(pos) + 20 * TYRE_SET_LEN <= buf@.len(),
    ensures
        *final(pos) == *old(pos) + 20 * TYRE_SET_LEN,
        enc_each(r@, enc_tyre_set_fn()) == buf@.subrange(*old(pos) as int, *final(pos) as int),
{
    let ghost start = *pos;
    let z = TyreSetData::zeroed();
    let mut arr = [z; 20];
    proof {
        assert(arr@.take(0) =~= Seq::<TyreSetData>::empty());
        assert(buf@.subrange(start as int, start as int) =~= Seq::<u8>::empty());
    }
    for i in 0..20
        invariant
            *pos == start + i * TYRE_SET_LEN,
            start + 20 * TYRE_SET_LEN <= buf@.len(),
            arr@.len() == 20,
            enc_each(arr@.take(i as int), enc_tyre_set_fn()) == buf@.subrange(
                start as int,
                *pos as int,
            ),
    {
        let ghost prev = arr@;
        let ghost p0 = *pos;
        let v = decode_tyre_set_at(buf, pos);
        arr[i] = v;
        proof {
            assert(arr@.take(i as int) =~= prev.take(i as int));
            assert(arr@.take(i as int + 1) =~= prev.take(i as int).push(v));
            lemma_enc_each_push(prev.take(i as int), enc_tyre_set_fn(), v);
            assert(enc_tyre_set_fn()(v) == enc_tyre_set(v));
            lemma_subrange_adjacent(buf@, start as int, p0 as int, p0 as int + TYRE_SET_LEN as int);
        }
    }
    proof {
        assert(arr@.take(20) =~= arr@);
    }
    arr
}

/// Appends the wire encoding.
fn encode_packet_tyre_sets_into(v: &PacketTyreSetData, out: &mut Vec<u8>)
    ensures
        final(out)@ == old(out)@ + enc_packet_tyre_sets(*v),
{
    encode_header_into(&v.header, out);
    write_u8(out, v.car_idx);
    let ghost beforetyre_set_data = out@;
    proof {
        assert(v.tyre_set_data@.take(0) =~= Seq::<TyreSetData>::empty());
        assert(out@ =~= beforetyre_set_data + enc_each(v.tyre_set_data@.take(0), enc_tyre_set_fn()));
    }
    for i in 0..20
        invariant
            v.tyre_set_data@.len() == 20,
            out@ == beforetyre_set_data + enc_each(v.tyre_set_data@.take(i as int), enc_tyre_set_fn()),
    {
        encode_tyre_set_into(&v.tyre_set_data[i], out);
        proof {
            assert(v.tyre_set_data@.take(i as int + 1) =~= v.tyre_set_data@.take(i as int).push(
                v.tyre_set_data@[i as int],
            ));
            lemma_enc_each_push(v.tyre_set_data@.take(i as int), enc_tyre_set_fn(), v.tyre_set_data@[i as int]);
            assert(enc_tyre_set_fn()(v.tyre_set_data@[i as int]) == enc_tyre_set(v.tyre_set_data@[i as int]));
            assert(out@ =~= beforetyre_set_data + enc_each(v.tyre_set_data@.take(i as int + 1), enc_tyre_set_fn()));
        }
    }
    proof {
        assert(v.tyre_set_data@.take(20) =~= v.tyre_set_data@);
    }
    write_u8(out, v.fitted_idx);
    proof {
        assert(out@ =~= old(out)@ + enc_packet_tyre_sets(*v));
    }
}

impl PacketTyreSetData {
    /// Decodes a packet of this kind from a datagram; fails with the
    /// short-buffer error exactly when fewer than 231 bytes are given.
    pub fn from_bytes(buf: &[u8]) -> (r: Result<PacketTyreSetData, PacketError>)
        ensures
            buf@.len() >= PACKET_TYRE_SETS_LEN ==> (r matches Ok(p) && enc_packet_tyre_sets(p)
                == buf@.subrange(0, PACKET_TYRE_SETS_LEN as int)),
            buf@.len() < PACKET_TYRE_SETS_LEN ==> r == Err::<PacketTyreSetData, PacketError>(
                PacketError::ShortBuffer,
            ),
    {
        if buf.len() < PACKET_TYRE_SETS_LEN {
            return Err(PacketError::ShortBuffer);
        }
        let mut pos: usize = 0;
        let p = decode_packet_tyre_sets_at(buf, &mut pos);
        Ok(p)
    }

    /// The full wire encoding of this packet.
    pub fn to_bytes(&self) -> (r: Vec<u8>)
        ensures
            r@ == enc_packet_tyre_sets(*self),
    {
        let mut out: Vec<u8> = Vec::new();
        encode_packet_tyre_sets_into(self, &mut out);
        proof {
            assert(Seq::<u8>::empty() + enc_packet_tyre_sets(*self) =~= enc_packet_tyre_sets(*self));
        }
        out
    }

    /// The packet's header.
    pub fn header(&self) -> (r: PacketHeader)
        ensures
            r == self.header,
    {
        self.header
    }

    /// The packet kind named by the header's packet-id byte.
    pub fn packet_id(&self) -> (r: Result<PacketID, PacketError>)
        ensures
            self.header.packet_id <= 13 ==> (r matches Ok(id) && packet_id_code(id)
                == self.header.packet_id),
            self.header.packet_id > 13 ==> r == Err::<PacketID, PacketError>(
                PacketError::InvalidPacketID(self.header.packet_id),
            ),
    {
        self.header.packet_id()
    }
}

} // verus!
