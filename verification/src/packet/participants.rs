//! Participants packet: the drivers in the session.

use vstd::prelude::*;

use crate::bytes::{
    enc_each, le8, lemma_bytes_injective, lemma_concat_split, lemma_enc_each_injective,
    lemma_enc_each_len, lemma_enc_each_push, lemma_le8_injective, lemma_subrange_adjacent,
    read_bytes, read_u8, write_bytes, write_u8,
};
use super::header::{
    decode_header_at, enc_header, encode_header_into, lemma_enc_header_injective, PacketHeader,
};
use super::{packet_id_code, PacketError, PacketID};

verus! {

/// Wire width in bytes.
pub const PARTICIPANT_LEN: usize = 58;

/// One participant in the session.
#[derive(Debug, Clone, Copy, PartialEq, Eq)]
pub struct ParticipantData {
    /// Whether the vehicle is AI controlled: 1 AI, 0 human.
    pub ai_controlled: u8,
    /// Driver identifier; 255 for a network human.
    pub driver_id: u8,
    /// Unique identifier for network players.
    pub network_id: u8,
    /// Team identifier.
    pub team_id: u8,
    /// My Team flag: 1 My Team, 0 otherwise.
    pub my_team: u8,
    /// Race number of the car.
    pub race_number: u8,
    /// Nationality of the driver.
    pub nationality: u8,
    /// Participant name in UTF-8, null terminated.
    pub name: [u8; 48],
    /// Telemetry visibility setting: 0 restricted, 1 public.
    pub your_telemetry: u8,
    /// Online names setting: 0 off, 1 on.
    pub show_online_names: u8,
    /// Platform: 1 Steam, 3 PlayStation, 4 Xbox, 6 Origin, 255 unknown.
    pub platform: u8,
}

/// Wire encoding.
pub open spec fn enc_participant(v: ParticipantData) -> Seq<u8> {
    le8(v.ai_controlled) + (le8(v.driver_id) + (le8(v.network_id) + (le8(v.team_id) + (le8(v.my_team) + (le8(v.race_number) + (le8(v.nationality) + (v.name@ + (le8(v.your_telemetry) + (le8(v.show_online_names) + (le8(v.platform)))))))))))
}

/// The element encoding, as a function value.
pub open spec fn enc_participant_fn() -> spec_fn(ParticipantData) -> Seq<u8> {
    |v: ParticipantData| enc_participant(v)
}

/// The encoding is 58 bytes long.
pub proof fn lemma_enc_participant_len(v: ParticipantData)
    ensures
        enc_participant(v).len() == PARTICIPANT_LEN,
{
}

/// An encoding determines the value: the round-trip guarantee.
pub proof fn lemma_enc_participant_injective(a: ParticipantData, b: ParticipantData)
    requires
        enc_participant(a) == enc_participant(b),
    ensures
        a == b,
{
    let ta10 = le8(a.platform);
    let tb10 = le8(b.platform);
    let ta9 = le8(a.show_online_names) + ta10;
    let tb9 = le8(b.show_online_names) + tb10;
    let ta8 = le8(a.your_telemetry) + ta9;
    let tb8 = le8(b.your_telemetry) + tb9;
    let ta7 = a.name@ + ta8;
    let tb7 = b.name@ + tb8;
    let ta6 = le8(a.nationality) + ta7;
    let tb6 = le8(b.nationality) + tb7;
    let ta5 = le8(a.race_number) + ta6;
    let tb5 = le8(b.race_number) + tb6;
    let ta4 = le8(a.my_team) + ta5;
    let tb4 = le8(b.my_team) + tb5;
    let ta3 = le8(a.team_id) + ta4;
    let tb3 = le8(b.team_id) + tb4;
    let ta2 = le8(a.network_id) + ta3;
    let tb2 = le8(b.network_id) + tb3;
    let ta1 = le8(a.driver_id) + ta2;
    let tb1 = le8(b.driver_id) + tb2;
    assert(le8(a.ai_controlled) + ta1 == enc_participant(a));
    assert(le8(b.ai_controlled) + tb1 == enc_participant(b));
    lemma_concat_split(le8(a.ai_controlled), ta1, le8(b.ai_controlled), tb1);
    lemma_le8_injective(a.ai_controlled, b.ai_controlled);
    lemma_concat_split(le8(a.driver_id), ta2, le8(b.driver_id), tb2);
    lemma_le8_injective(a.driver_id, b.driver_id);
    lemma_concat_split(le8(a.network_id), ta3, le8(b.network_id), tb3);
    lemma_le8_injective(a.network_id, b.network_id);
    lemma_concat_split(le8(a.team_id), ta4, le8(b.team_id), tb4);
    lemma_le8_injective(a.team_id, b.team_id);
    lemma_concat_split(le8(a.my_team), ta5, le8(b.my_team), tb5);
    lemma_le8_injective(a.my_team, b.my_team);
    lemma_concat_split(le8(a.race_number), ta6, le8(b.race_number), tb6);
    lemma_le8_injective(a.race_number, b.race_number);
    lemma_concat_split(le8(a.nationality), ta7, le8(b.nationality), tb7);
    lemma_le8_injective(a.nationality, b.nationality);
    lemma_concat_split(a.name@, ta8, b.name@, tb8);
    lemma_bytes_injective(a.name, b.name);
    lemma_concat_split(le8(a.your_telemetry), ta9, le8(b.your_telemetry), tb9);
    lemma_le8_injective(a.your_telemetry, b.your_telemetry);
    lemma_concat_split(le8(a.show_online_names), ta10, le8(b.show_online_names), tb10);
    lemma_le8_injective(a.show_online_names, b.show_online_names);
    lemma_le8_injective(a.platform, b.platform);
}

impl ParticipantData {
    /// A record with every field zero.
    pub fn zeroed() -> (r: ParticipantData)
        ensures
            r.ai_controlled == 0,
            r.driver_id == 0,
            r.network_id == 0,
            r.team_id == 0,
            r.my_team == 0,
            r.race_number == 0,
            r.nationality == 0,
            forall|i: int| 0 <= i < 48 ==> #[trigger] r.name@[i] == 0,
            r.your_telemetry == 0,
            r.show_online_names == 0,
            r.platform == 0,
    {
        ParticipantData {
            ai_controlled: 0,
            driver_id: 0,
            network_id: 0,
            team_id: 0,
            my_team: 0,
            race_number: 0,
            nationality: 0,
            name: [0u8; 48],
            your_telemetry: 0,
            show_online_names: 0,
            platform: 0,
        }
    }
}

/// Decodes one record at the cursor.
fn decode_participant_at(buf: &[u8], pos: &mut usize) -> (r: ParticipantData)
    requires
        *old(pos) + PARTICIPANT_LEN <= buf@.len(),
    ensures
        *final(pos) == *old(pos) + PARTICIPANT_LEN,
        enc_participant(r) == buf@.subrange(*old(pos) as int, *final(pos) as int),
{
    let ghost start = *pos;
    let ai_controlled = read_u8(buf, pos);
    let driver_id = read_u8(buf, pos);
    let network_id = read_u8(buf, pos);
    let team_id = read_u8(buf, pos);
    let my_team = read_u8(buf, pos);
    let race_number = read_u8(buf, pos);
    let nationality = read_u8(buf, pos);
    let name = read_bytes::<48>(buf, pos);
    let your_telemetry = read_u8(buf, pos);
    let show_online_names = read_u8(buf, pos);
    let platform = read_u8(buf, pos);
    let r = ParticipantData {
        ai_controlled,
        driver_id,
        network_id,
        team_id,
        my_team,
        race_number,
        nationality,
        name,
        your_telemetry,
        show_online_names,
        platform,
    };
    proof {
        assert(enc_participant(r) =~= buf@.subrange(start as int, start as int + PARTICIPANT_LEN as int));
    }
    r
}

/// Appends the wire encoding.
fn encode_participant_into(v: &ParticipantData, out: &mut Vec<u8>)
    ensures
        final(out)@ == old(out)@ + enc_participant(*v),
{
    write_u8(out, v.ai_controlled);
    write_u8(out, v.driver_id);
    write_u8(out, v.network_id);
    write_u8(out, v.team_id);
    write_u8(out, v.my_team);
    write_u8(out, v.race_number);
    write_u8(out, v.nationality);
    write_bytes::<48>(out, &v.name);
    write_u8(out, v.your_telemetry);
    write_u8(out, v.show_online_names);
    write_u8(out, v.platform);
    proof {
        assert(out@ =~= old(out)@ + enc_participant(*v));
    }
}

/// Wire width in bytes.
pub const PACKET_PARTICIPANTS_LEN: usize = 1306;

/// Participants packet: the drivers in the session, indexed by car.
#[derive(Debug, Clone, Copy, PartialEq, Eq)]
pub struct PacketParticipantsData {
    /// Packet header.
    pub header: PacketHeader,
    /// Number of active cars in the data.
    pub num_active_cars_u8: u8,
    /// Data for all participants.
    pub participants: [ParticipantData; 22],
}

/// Wire encoding.
pub open spec fn enc_packet_participants(v: PacketParticipantsData) -> Seq<u8> {
    enc_header(v.header) + (le8(v.num_active_cars_u8) + (enc_each(v.participants@, enc_participant_fn())))
}

/// The encoding is 1306 bytes long.
pub proof fn lemma_enc_packet_participants_len(v: PacketParticipantsData)
    ensures
        enc_packet_participants(v).len() == PACKET_PARTICIPANTS_LEN,
{
    assert forall|x: ParticipantData| (#[trigger] enc_participant_fn()(x)).len() == PARTICIPANT_LEN by {
        lemma_enc_participant_len(x);
    }
    lemma_enc_each_len(v.participants@, enc_participant_fn(), PARTICIPANT_LEN as nat);
}

/// An encoding determines the value: the round-trip guarantee.
pub proof fn lemma_enc_packet_participants_injective(a: PacketParticipantsData, b: PacketParticipantsData)
    requires
        enc_packet_participants(a) == enc_packet_participants(b),
    ensures
        a == b,
{
    assert forall|x: ParticipantData| (#[trigger] enc_participant_fn()(x)).len() == PARTICIPANT_LEN by {
        lemma_enc_participant_len(x);
    }
    lemma_enc_each_len(a.participants@, enc_participant_fn(), PARTICIPANT_LEN as nat);
    lemma_enc_each_len(b.participants@, enc_participant_fn(), PARTICIPANT_LEN as nat);
    let ta2 = enc_each(a.participants@, enc_participant_fn());
    let tb2 = enc_each(b.participants@, enc_participant_fn());
    let ta1 = le8(a.num_active_cars_u8) + ta2;
    let tb1 = le8(b.num_active_cars_u8) + tb2;
    assert(enc_header(a.header) + ta1 == enc_packet_participants(a));
    assert(enc_header(b.header) + tb1 == enc_packet_participants(b));
    lemma_concat_split(enc_header(a.header), ta1, enc_header(b.header), tb1);
    lemma_enc_header_injective(a.header, b.header);
    lemma_concat_split(le8(a.num_active_cars_u8), ta2, le8(b.num_active_cars_u8), tb2);
    lemma_le8_injective(a.num_active_cars_u8, b.num_active_cars_u8);
    assert forall|x: ParticipantData, y: ParticipantData|
        #[trigger] enc_participant_fn()(x) == #[trigger] enc_participant_fn()(y) implies x == y by {
        lemma_enc_participant_injective(x, y);
    }
    lemma_enc_each_injective(a.participants@, b.participants@, enc_participant_fn(), PARTICIPANT_LEN as nat);
    assert(a.participants =~= b.participants);
}

/// Decodes the packet body at the cursor.
fn decode_packet_participants_at(buf: &[u8], pos: &mut usize) -> (r: PacketParticipantsData)
    requires
        *old(pos) + PACKET_PARTICIPANTS_LEN <= buf@.len(),
    ensures
        *final(pos) == *old(pos) + PACKET_PARTICIPANTS_LEN,
        enc_packet_participants(r) == buf@.subrange(*old(pos) as int, *final(pos) as int),
{
    let ghost start = *pos;
    let header = decode_header_at(buf, pos);
    let num_active_cars_u8 = read_u8(buf, pos);
    let participants = decode_participant_array(buf, pos);
    let r = PacketParticipantsData {
        header,
        num_active_cars_u8,
        participants,
    };
    proof {
        assert(enc_packet_participants(r) =~= buf@.subrange(start as int, start as int + PACKET_PARTICIPANTS_LEN as int));
    }
    r
}

/// Decodes the 22-element array of records at the cursor.
fn decode_participant_array(buf: &[u8], pos: &mut usize) -> (r: [ParticipantData; 22])
    requires
        *old(pos) + 22 * PARTICIPANT_LEN <= buf@.len(),
    ensures
        *final(pos) == *old(pos) + 22 * PARTICIPANT_LEN,
        enc_each(r@, enc_participant_fn()) == buf@.subrange(*old(pos) as int, *final(pos) as int),
{
    let ghost start = *pos;
    let z = ParticipantData::zeroed();
    let mut arr = [z; 22];
    proof {
        assert(arr@.take(0) =~= Seq::<ParticipantData>::empty());
        assert(buf@.subrange(start as int, start as int) =~= Seq::<u8>::empty());
    }
    for i in 0..22
        invariant
            *pos == start + i * PARTICIPANT_LEN,
            start + 22 * PARTICIPANT_LEN <= buf@.len(),
            arr@.len() == 22,
            enc_each(arr@.take(i as int), enc_participant_fn()) == buf@.subrange(
                start as int,
                *pos as int,
            ),
    {
        let ghost prev = arr@;
        let ghost p0 = *pos;
        let v = decode_participant_at(buf, pos);
        arr[i] = v;
        proof {
            assert(arr@.take(i as int) =~= prev.take(i as int));
            assert(arr@.take(i as int + 1) =~= prev.take(i as int).push(v));
            lemma_enc_each_push(prev.take(i as int), enc_participant_fn(), v);
            assert(enc_participant_fn()(v) == enc_participant(v));
            lemma_subrange_adjacent(buf@, start as int, p0 as int, p0 as int + PARTICIPANT_LEN as int);
        }
    }
    proof {
        assert(arr@.take(22) =~= arr@);
    }
    arr
}

/// Appends the wire encoding.
fn encode_packet_participants_into(v: &PacketParticipantsData, out: &mut Vec<u8>)
    ensures
        final(out)@ == old(out)@ + enc_packet_participants(*v),
{
    encode_header_into(&v.header, out);
    write_u8(out, v.num_active_cars_u8);
    let ghost beforeparticipants = out@;
    proof {
        assert(v.participants@.take(0) =~= Seq::<ParticipantData>::empty());
        assert(out@ =~= beforeparticipants + enc_each(v.participants@.take(0), enc_participant_fn()));
    }
    for i in 0..22
        invariant
            v.participants@.len() == 22,
            out@ == beforeparticipants + enc_each(v.participants@.take(i as int), enc_participant_fn()),
    {
        encode_participant_into(&v.participants[i], out);
        proof {
            assert(v.participants@.take(i as int + 1) =~= v.participants@.take(i as int).push(
                v.participants@[i as int],
            ));
            lemma_enc_each_push(v.participants@.take(i as int), enc_participant_fn(), v.participants@[i as int]);
            assert(enc_participant_fn()(v.participants@[i as int]) == enc_participant(v.participants@[i as int]));
            assert(out@ =~= beforeparticipants + enc_each(v.participants@.take(i as int + 1), enc_participant_fn()));
        }
    }
    proof {
        assert(v.participants@.take(22) =~= v.participants@);
    }
    proof {
        assert(out@ =~= old(out)@ + enc_packet_participants(*v));
    }
}

impl PacketParticipantsData {
    /// Decodes a packet of this kind from a datagram; fails with the
    /// short-buffer error exactly when fewer than 1306 bytes are given.
    pub fn from_bytes(buf: &[u8]) -> (r: Result<PacketParticipantsData, PacketError>)
        ensures
            buf@.len() >= PACKET_PARTICIPANTS_LEN ==> (r matches Ok(p) && enc_packet_participants(p)
                == buf@.subrange(0, PACKET_PARTICIPANTS_LEN as int)),
            buf@.len() < PACKET_PARTICIPANTS_LEN ==> r == Err::<PacketParticipantsData, PacketError>(
                PacketError::ShortBuffer,
            ),
    {
        if buf.len() < PACKET_PARTICIPANTS_LEN {
            return Err(PacketError::ShortBuffer);
        }
        let mut pos: usize = 0;
        let p = decode_packet_participants_at(buf, &mut pos);
        Ok(p)
    }

    /// The full wire encoding of this packet.
    pub fn to_bytes(&self) -> (r: Vec<u8>)
        ensures
            r@ == enc_packet_participants(*self),
    {
        let mut out: Vec<u8> = Vec::new();
        encode_packet_participants_into(self, &mut out);
        proof {
            assert(Seq::<u8>::empty() + enc_packet_participants(*self) =~= enc_packet_participants(*self));
        }
        out
    }

    /// The packet's header.
    pub fn header(&self) -> (r: PacketHeader)
        ensures
            r == self.header,
    {
        self.header
    }

    /// The packet kind named by the header's packet-id byte.
    pub fn packet_id(&self) -> (r: Result<PacketID, PacketError>)
        ensures
            self.header.packet_id <= 13 ==> (r matches Ok(id) && packet_id_code(id)
                == self.header.packet_id),
            self.header.packet_id > 13 ==> r == Err::<PacketID, PacketError>(
                PacketError::InvalidPacketID(self.header.packet_id),
            ),
    {
        self.header.packet_id()
    }
}

} // verus!
