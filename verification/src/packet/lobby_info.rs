//! Lobby info packet.

use vstd::prelude::*;

use crate::bytes::{
    enc_each, le8, lemma_bytes_injective, lemma_concat_split, lemma_enc_each_injective,
    lemma_enc_each_len, lemma_enc_each_push, lemma_le8_injective, lemma_subrange_adjacent,
    read_bytes, read_u8, write_bytes, write_u8,
};
use super::header::{
    decode_header_at, enc_header, encode_header_into, lemma_enc_header_injective, PacketHeader,
};
use super::{packet_id_code, PacketError, PacketID};

verus! {

/// Wire width in bytes.
pub const LOBBY_INFO_LEN: usize = 54;

/// One player in a multiplayer lobby.
#[derive(Debug, Clone, Copy, PartialEq, Eq)]
pub struct LobbyInfoData {
    /// Whether the vehicle is AI controlled: 1 AI, 0 human.
    pub ai_controlled: u8,
    /// Team identifier; 255 if none selected.
    pub team_id: u8,
    /// Nationality of the driver.
    pub nationality: u8,
    /// Platform: 1 Steam, 3 PlayStation, 4 Xbox, 6 Origin, 255 unknown.
    pub platform: u8,
    /// Player name in UTF-8, null terminated.
    pub name: [u8; 48],
    /// Car number of the player.
    pub car_number: u8,
    /// Ready status: 0 not ready, 1 ready, 2 spectating.
    pub ready_status: u8,
}

/// Wire encoding.
pub open spec fn enc_lobby_info(v: LobbyInfoData) -> Seq<u8> {
    le8(v.ai_controlled) + (le8(v.team_id) + (le8(v.nationality) + (le8(v.platform) + (v.name@ + (le8(v.car_number) + (le8(v.ready_status)))))))
}

/// The element encoding, as a function value.
pub open spec fn enc_lobby_info_fn() -> spec_fn(LobbyInfoData) -> Seq<u8> {
    |v: LobbyInfoData| enc_lobby_info(v)
}

/// The encoding is 54 bytes long.
pub proof fn lemma_enc_lobby_info_len(v: LobbyInfoData)
    ensures
        enc_lobby_info(v).len() == LOBBY_INFO_LEN,
{
}

/// An encoding determines the value: the round-trip guarantee.
pub proof fn lemma_enc_lobby_info_injective(a: LobbyInfoData, b: LobbyInfoData)
    requires
        enc_lobby_info(a) == enc_lobby_info(b),
    ensures
        a == b,
{
    let ta6 = le8(a.ready_status);
    let tb6 = le8(b.ready_status);
    let ta5 = le8(a.car_number) + ta6;
    let tb5 = le8(b.car_number) + tb6;
    let ta4 = a.name@ + ta5;
    let tb4 = b.name@ + tb5;
    let ta3 = le8(a.platform) + ta4;
    let tb3 = le8(b.platform) + tb4;
    let ta2 = le8(a.nationality) + ta3;
    let tb2 = le8(b.nationality) + tb3;
    let ta1 = le8(a.team_id) + ta2;
    let tb1 = le8(b.team_id) + tb2;
    assert(le8(a.ai_controlled) + ta1 == enc_lobby_info(a));
    assert(le8(b.ai_controlled) + tb1 == enc_lobby_info(b));
    lemma_concat_split(le8(a.ai_controlled), ta1, le8(b.ai_controlled), tb1);
    lemma_le8_injective(a.ai_controlled, b.ai_controlled);
    lemma_concat_split(le8(a.team_id), ta2, le8(b.team_id), tb2);
    lemma_le8_injective(a.team_id, b.team_id);
    lemma_concat_split(le8(a.nationality), ta3, le8(b.nationality), tb3);
    lemma_le8_injective(a.nationality, b.nationality);
    lemma_concat_split(le8(a.platform), ta4, le8(b.platform), tb4);
    lemma_le8_injective(a.platform, b.platform);
    lemma_concat_split(a.name@, ta5, b.name@, tb5);
    lemma_bytes_injective(a.name, b.name);
    lemma_concat_split(le8(a.car_number), ta6, le8(b.car_number), tb6);
    lemma_le8_injective(a.car_number, b.car_number);
    lemma_le8_injective(a.ready_status, b.ready_status);
}

impl LobbyInfoData {
    /// A record with every field zero.
    pub fn zeroed() -> (r: LobbyInfoData)
        ensures
            r.ai_controlled == 0,
            r.team_id == 0,
            r.nationality == 0,
            r.platform == 0,
            forall|i: int| 0 <= i < 48 ==> #[trigger] r.name@[i] == 0,
            r.car_number == 0,
            r.ready_status == 0,
    {
        LobbyInfoData {
            ai_controlled: 0,
            team_id: 0,
            nationality: 0,
            platform: 0,
            name: [0u8; 48],
            car_number: 0,
            ready_status: 0,
        }
    }
}

/// Decodes one record at the cursor.
fn decode_lobby_info_at(buf: &[u8], pos: &mut usize) -> (r: LobbyInfoData)
    requires
        *old(pos) + LOBBY_INFO_LEN <= buf@.len(),
    ensures
        *final(pos) == *old(pos) + LOBBY_INFO_LEN,
        enc_lobby_info(r) == buf@.subrange(*old(pos) as int, *final(pos) as int),
{
    let ghost start = *pos;
    let ai_controlled = read_u8(buf, pos);
    let team_id = read_u8(buf, pos);
    let nationality = read_u8(buf, pos);
    let platform = read_u8(buf, pos);
    let name = read_bytes::<48>(buf, pos);
    let car_number = read_u8(buf, pos);
    let ready_status = read_u8(buf, pos);
    let r = LobbyInfoData {
        ai_controlled,
        team_id,
        nationality,
        platform,
        name,
        car_number,
        ready_status,
    };
    proof {
        assert(enc_lobby_info(r) =~= buf@.subrange(start as int, start as int + LOBBY_INFO_LEN as int));
    }
    r
}

/// Appends the wire encoding.
fn encode_lobby_info_into(v: &LobbyInfoData, out: &mut Vec<u8>)
    ensures
        final(out)@ == old(out)@ + enc_lobby_info(*v),
{
    write_u8(out, v.ai_controlled);
    write_u8(out, v.team_id);
    write_u8(out, v.nationality);
    write_u8(out, v.platform);
    write_bytes::<48>(out, &v.name);
    write_u8(out, v.car_number);
    write_u8(out, v.ready_status);
    proof {
        assert(out@ =~= old(out)@ + enc_lobby_info(*v));
    }
}

/// Wire width in bytes.
pub const PACKET_LOBBY_INFO_LEN: usize = 1218;

/// Lobby info packet: the players in a multiplayer lobby.
#[derive(Debug, Clone, Copy, PartialEq, Eq)]
pub struct PacketLobbyInfoData {
    /// Packet header.
    pub header: PacketHeader,
    /// Number of players in the lobby data.
    pub num_players: u8,
    /// Lobby info for all players.
    pub lobby_players: [LobbyInfoData; 22],
}

/// Wire encoding.
pub open spec fn enc_packet_lobby_info(v: PacketLobbyInfoData) -> Seq<u8> {
    enc_header(v.header) + (le8(v.num_players) + (enc_each(v.lobby_players@, enc_lobby_info_fn())))
}

/// The encoding is 1218 bytes long.
pub proof fn lemma_enc_packet_lobby_info_len(v: PacketLobbyInfoData)
    ensures
        enc_packet_lobby_info(v).len() == PACKET_LOBBY_INFO_LEN,
{
    assert forall|x: LobbyInfoData| (#[trigger] enc_lobby_info_fn()(x)).len() == LOBBY_INFO_LEN by {
        lemma_enc_lobby_info_len(x);
    }
    lemma_enc_each_len(v.lobby_players@, enc_lobby_info_fn(), LOBBY_INFO_LEN as nat);
}

/// An encoding determines the value: the round-trip guarantee.
pub proof fn lemma_enc_packet_lobby_info_injective(a: PacketLobbyInfoData, b: PacketLobbyInfoData)
    requires
        enc_packet_lobby_info(a) == enc_packet_lobby_info(b),
    ensures
        a == b,
{
    assert forall|x: LobbyInfoData| (#[trigger] enc_lobby_info_fn()(x)).len() == LOBBY_INFO_LEN by {
        lemma_enc_lobby_info_len(x);
    }
    lemma_enc_each_len(a.lobby_players@, enc_lobby_info_fn(), LOBBY_INFO_LEN as nat);
    lemma_enc_each_len(b.lobby_players@, enc_lobby_info_fn(), LOBBY_INFO_LEN as nat);
    let ta2 = enc_each(a.lobby_players@, enc_lobby_info_fn());
    let tb2 = enc_each(b.lobby_players@, enc_lobby_info_fn());
    let ta1 = le8(a.num_players) + ta2;
    let tb1 = le8(b.num_players) + tb2;
    assert(enc_header(a.header) + ta1 == enc_packet_lobby_info(a));
    assert(enc_header(b.header) + tb1 == enc_packet_lobby_info(b));
    lemma_concat_split(enc_header(a.header), ta1, enc_header(b.header), tb1);
    lemma_enc_header_injective(a.header, b.header);
    lemma_concat_split(le8(a.num_players), ta2, le8(b.num_players), tb2);
    lemma_le8_injective(a.num_players, b.num_players);
    assert forall|x: LobbyInfoData, y: LobbyInfoData|
        #[trigger] enc_lobby_info_fn()(x) == #[trigger] enc_lobby_info_fn()(y) implies x == y by {
        lemma_enc_lobby_info_injective(x, y);
    }
    lemma_enc_each_injective(a.lobby_players@, b.lobby_players@, enc_lobby_info_fn(), LOBBY_INFO_LEN as nat);
    assert(a.lobby_players =~= b.lobby_players);
}

/// Decodes the packet body at the cursor.
fn decode_packet_lobby_info_at(buf: &[u8], pos: &mut usize) -> (r: PacketLobbyInfoData)
    requires
        *old(pos) + PACKET_LOBBY_INFO_LEN <= buf@.len(),
    ensures
        *final(pos) == *old(pos) + PACKET_LOBBY_INFO_LEN,
        enc_packet_lobby_info(r) == buf@.subrange(*old(pos) as int, *final(pos) as int),
{
    let ghost start = *pos;
    let header = decode_header_at(buf, pos);
    let num_players = read_u8(buf, pos);
    let lobby_players = decode_lobby_info_array(buf, pos);
    let r = PacketLobbyInfoData {
        header,
        num_players,
        lobby_players,
    };
    proof {
        assert(enc_packet_lobby_info(r) =~= buf@.subrange(start as int, start as int + PACKET_LOBBY_INFO_LEN as int));
    }
    r
}

/// Decodes the 22-element array of records at the cursor.
fn decode_lobby_info_array(buf: &[u8], pos: &mut usize) -> (r: [LobbyInfoData; 22])
    requires
        *old(pos) + 22 * LOBBY_INFO_LEN <= buf@.len(),
    ensures
        *final(pos) == *old(pos) + 22 * LOBBY_INFO_LEN,
        enc_each(r@, enc_lobby_info_fn()) == buf@.subrange(*old(pos) as int, *final(pos) as int),
{
    let ghost start = *pos;
    let z = LobbyInfoData::zeroed();
    let mut arr = [z; 22];
    proof {
        assert(arr@.take(0) =~= Seq::<LobbyInfoData>::empty());
        assert(buf@.subrange(start as int, start as int) =~= Seq::<u8>::empty());
    }
    for i in 0..22
        invariant
            *pos == start + i * LOBBY_INFO_LEN,
            start + 22 * LOBBY_INFO_LEN <= buf@.len(),
            arr@.len() == 22,
            enc_each(arr@.take(i as int), enc_lobby_info_fn()) == buf@.subrange(
                start as int,
                *pos as int,
            ),
    {
        let ghost prev = arr@;
        let ghost p0 = *pos;
        let v = decode_lobby_info_at(buf, pos);
        arr[i] = v;
        proof {
            assert(arr@.take(i as int) =~= prev.take(i as int));
            assert(arr@.take(i as int + 1) =~= prev.take(i as int).push(v));
            lemma_enc_each_push(prev.take(i as int), enc_lobby_info_fn(), v);
            assert(enc_lobby_info_fn()(v) == enc_lobby_info(v));
            lemma_subrange_adjacent(buf@, start as int, p0 as int, p0 as int + LOBBY_INFO_LEN as int);
        }
    }
    proof {
        assert(arr@.take(22) =~= arr@);
    }
    arr
}

/// Appends the wire encoding.
fn encode_packet_lobby_info_into(v: &PacketLobbyInfoData, out: &mut Vec<u8>)
    ensures
        final(out)@ == old(out)@ + enc_packet_lobby_info(*v),
{
    encode_header_into(&v.header, out);
    write_u8(out, v.num_players);
    let ghost beforelobby_players = out@;
    proof {
        assert(v.lobby_players@.take(0) =~= Seq::<LobbyInfoData>::empty());
        assert(out@ =~= beforelobby_players + enc_each(v.lobby_players@.take(0), enc_lobby_info_fn()));
    }
    for i in 0..22
        invariant
            v.lobby_players@.len() == 22,
            out@ == beforelobby_players + enc_each(v.lobby_players@.take(i as int), enc_lobby_info_fn()),
    {
        encode_lobby_info_into(&v.lobby_players[i], out);
        proof {
            assert(v.lobby_players@.take(i as int + 1) =~= v.lobby_players@.take(i as int).push(
                v.lobby_players@[i as int],
            ));
            lemma_enc_each_push(v.lobby_players@.take(i as int), enc_lobby_info_fn(), v.lobby_players@[i as int]);
            assert(enc_lobby_info_fn()(v.lobby_players@[i as int]) == enc_lobby_info(v.lobby_players@[i as int]));
            assert(out@ =~= beforelobby_players + enc_each(v.lobby_players@.take(i as int + 1), enc_lobby_info_fn()));
        }
    }
    proof {
        assert(v.lobby_players@.take(22) =~= v.lobby_players@);
    }
    proof {
        assert(out@ =~= old(out)@ + enc_packet_lobby_info(*v));
    }
}

impl PacketLobbyInfoData {
    /// Decodes a packet of this kind from a datagram; fails with the
    /// short-buffer error exactly when fewer than 1218 bytes are given.
    pub fn from_bytes(buf: &[u8]) -> (r: Result<PacketLobbyInfoData, PacketError>)
        ensures
            buf@.len() >= PACKET_LOBBY_INFO_LEN ==> (r matches Ok(p) && enc_packet_lobby_info(p)
                == buf@.subrange(0, PACKET_LOBBY_INFO_LEN as int)),
            buf@.len() < PACKET_LOBBY_INFO_LEN ==> r == Err::<PacketLobbyInfoData, PacketError>(
                PacketError::ShortBuffer,
            ),
    {
        if buf.len() < PACKET_LOBBY_INFO_LEN {
            return Err(PacketError::ShortBuffer);
        }
        let mut pos: usize = 0;
        let p = decode_packet_lobby_info_at(buf, &mut pos);
        Ok(p)
    }

    /// The full wire encoding of this packet.
    pub fn to_bytes(&self) -> (r: Vec<u8>)
        ensures
            r@ == enc_packet_lobby_info(*self),
    {
        let mut out: Vec<u8> = Vec::new();
        encode_packet_lobby_info_into(self, &mut out);
        proof {
            assert(Seq::<u8>::empty() + enc_packet_lobby_info(*self) =~= enc_packet_lobby_info(*self));
        }
        out
    }

    /// The packet's header.
    pub fn header(&self) -> (r: PacketHeader)
        ensures
            r == self.header,
    {
        self.header
    }

    /// The packet kind named by the header's packet-id byte.
    pub fn packet_id(&self) -> (r: Result<PacketID, PacketError>)
        ensures
            self.header.packet_id <= 13 ==> (r matches Ok(id) && packet_id_code(id)
                == self.header.packet_id),
            self.header.packet_id > 13 ==> r == Err::<PacketID, PacketError>(
                PacketError::InvalidPacketID(self.header.packet_id),
            ),
    {
        self.header.packet_id()
    }
}

} // verus!
